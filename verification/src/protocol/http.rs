//! The HTTP vocabulary: what a form and a response say about HTTP.

use vstd::prelude::*;
use crate::array::{decode_array, encode_array, lemma_all_round_trip, models, read_all, write_all};
use crate::builder::{Buildable, Builder};
use crate::error::{Error, ErrorKind, Failure};
use crate::fields::{
    count_or_null,
    optional_count_at,
    optional_text_at,
    optional_text_view,
    put_count_or_null,
    put_text_or_null,
    read_optional_count,
    read_optional_text,
    same_text,
    text_or_null,
    under_key,
    violation_at,
};
use crate::value::{find, object_map, put, Data, Value};
use crate::wire::{lemma_restrict_agrees, name_set, Wire, WireLaws};

verus! {

/// An HTTP method.
#[derive(Debug, Clone, Copy, PartialEq, Eq, Structural)]
pub enum Method {
    Get,
    Put,
    Post,
    Delete,
    Patch,
}

/// A header of an HTTP message.
#[derive(Debug, Clone, PartialEq, Eq)]
pub struct MessageHeader {
    pub field_name: Option<String>,
    pub field_value: Option<String>,
}

/// What a response says about HTTP.
#[derive(Debug, Clone, PartialEq, Eq)]
pub struct Response {
    pub headers: Vec<MessageHeader>,
    pub status_code_value: Option<usize>,
}

/// What a form says about HTTP.
#[derive(Debug, Clone, PartialEq, Eq)]
pub struct Form {
    pub method_name: Option<Method>,
}

/// The model of a `MessageHeader`.
pub struct MessageHeaderModel {
    pub field_name: Option<Seq<char>>,
    pub field_value: Option<Seq<char>>,
}

/// The model of a `Response`.
pub struct ResponseModel {
    pub headers: Seq<MessageHeaderModel>,
    pub status_code_value: Option<usize>,
}

/// The name that a method is written as.
pub open spec fn method_name(method: Method) -> Seq<char> {
    match method {
        Method::Get => "GET"@,
        Method::Put => "PUT"@,
        Method::Post => "POST"@,
        Method::Delete => "DELETE"@,
        Method::Patch => "PATCH"@,
    }
}

/// The method that a name stands for.
pub open spec fn method_named(name: Seq<char>) -> Option<Method> {
    if name == "GET"@ {
        Some(Method::Get)
    } else if name == "PUT"@ {
        Some(Method::Put)
    } else if name == "POST"@ {
        Some(Method::Post)
    } else if name == "DELETE"@ {
        Some(Method::Delete)
    } else if name == "PATCH"@ {
        Some(Method::Patch)
    } else {
        None
    }
}

/// No two methods have the same name.
pub proof fn lemma_method_names(method: Method)
    ensures
        method_named(method_name(method)) == Some(method),
{
    reveal_strlit("GET");
    reveal_strlit("PUT");
    reveal_strlit("POST");
    reveal_strlit("DELETE");
    reveal_strlit("PATCH");
    assert("GET"@.len() == 3 && "PUT"@.len() == 3 && "POST"@.len() == 4);
    assert("DELETE"@.len() == 6 && "PATCH"@.len() == 5);
    assert("GET"@[0] == 'G' && "PUT"@[0] == 'P');
}

/// The keys of the HTTP vocabulary are all different.
pub proof fn lemma_keys_differ()
    ensures
        "htv:fieldName"@ != "htv:fieldValue"@,
        "htv:headers"@ != "htv:statusCodeValue"@,
{
    reveal_strlit("htv:fieldName");
    reveal_strlit("htv:fieldValue");
    reveal_strlit("htv:headers");
    reveal_strlit("htv:statusCodeValue");
    assert("htv:fieldName"@.len() == 13 && "htv:fieldValue"@.len() == 14);
    assert("htv:headers"@.len() == 11 && "htv:statusCodeValue"@.len() == 19);
}

impl Wire for Method {
    type Model = Method;

    open spec fn lawful() -> bool {
        true
    }

    open spec fn model(&self) -> Method {
        *self
    }

    open spec fn keys() -> Set<Seq<char>> {
        Set::empty()
    }

    /// A method is written as its name in capitals.
    open spec fn encode(model: Method) -> Result<Data, Failure> {
        Ok(Data::Text(method_name(model)))
    }

    /// A method is read from its name in capitals, and from nothing else.
    open spec fn decode(data: Data) -> Result<Method, Failure> {
        match data {
            Data::Text(name) => match method_named(name) {
                Some(method) => Ok(method),
                None => Err(Failure::root(ErrorKind::UnknownEnumVariant)),
            },
            _ => Err(Failure::root(ErrorKind::SchemaViolation)),
        }
    }

    fn field_names() -> (names: Vec<String>) {
        let names: Vec<String> = Vec::new();
        assert(name_set(names@) =~= Set::empty());
        names
    }

    fn to_value(&self) -> (written: Result<Value, Error>) {
        let name = match self {
            Method::Get => "GET",
            Method::Put => "PUT",
            Method::Post => "POST",
            Method::Delete => "DELETE",
            Method::Patch => "PATCH",
        };
        Ok(Value::Text(name.to_owned()))
    }

    fn from_value(value: &Value) -> (read: Result<Method, Error>) {
        match value {
            Value::Text(name) => {
                if same_text(name, "GET") {
                    Ok(Method::Get)
                } else if same_text(name, "PUT") {
                    Ok(Method::Put)
                } else if same_text(name, "POST") {
                    Ok(Method::Post)
                } else if same_text(name, "DELETE") {
                    Ok(Method::Delete)
                } else if same_text(name, "PATCH") {
                    Ok(Method::Patch)
                } else {
                    Err(Error::new(ErrorKind::UnknownEnumVariant))
                }
            },
            _ => Err(Error::new(ErrorKind::SchemaViolation)),
        }
    }
}

impl WireLaws for Method {
    proof fn lemma_lawful() {
    }

    proof fn lemma_round_trip(model: Method) {
        lemma_method_names(model);
    }

    proof fn lemma_encode_keys(model: Method) {
    }

    proof fn lemma_decode_frame(a: Map<Seq<char>, Data>, b: Map<Seq<char>, Data>) {
    }
}

/// The names of two keys.
fn two_names(first: &str, second: &str) -> (names: Vec<String>)
    ensures
        name_set(names@) == set![first@, second@],
{
    let mut names: Vec<String> = Vec::new();
    names.push(first.to_owned());
    names.push(second.to_owned());
    proof {
        assert(names@[0]@ == first@);
        assert(names@[1]@ == second@);
        assert(name_set(names@) =~= set![first@, second@]);
    }
    names
}

impl Wire for MessageHeader {
    type Model = MessageHeaderModel;

    open spec fn lawful() -> bool {
        true
    }

    open spec fn model(&self) -> MessageHeaderModel {
        MessageHeaderModel {
            field_name: optional_text_view(self.field_name),
            field_value: optional_text_view(self.field_value),
        }
    }

    open spec fn keys() -> Set<Seq<char>> {
        set!["htv:fieldName"@, "htv:fieldValue"@]
    }

    /// A header is written as an object with its name and its value; what is
    /// absent is written as null.
    open spec fn encode(model: MessageHeaderModel) -> Result<Data, Failure> {
        Ok(
            Data::Object(
                Map::empty().insert("htv:fieldName"@, text_or_null(model.field_name)).insert(
                    "htv:fieldValue"@,
                    text_or_null(model.field_value),
                ),
            ),
        )
    }

    /// A header is read from an object; its name and its value may both be
    /// missing.
    open spec fn decode(data: Data) -> Result<MessageHeaderModel, Failure> {
        match data {
            Data::Object(object) => match optional_text_at(object, "htv:fieldName"@) {
                Err(failure) => Err(failure),
                Ok(field_name) => match optional_text_at(object, "htv:fieldValue"@) {
                    Err(failure) => Err(failure),
                    Ok(field_value) => Ok(MessageHeaderModel { field_name, field_value }),
                },
            },
            _ => Err(Failure::root(ErrorKind::SchemaViolation)),
        }
    }

    fn field_names() -> (names: Vec<String>) {
        two_names("htv:fieldName", "htv:fieldValue")
    }

    fn to_value(&self) -> (written: Result<Value, Error>) {
        let mut entries: Vec<(String, Value)> = Vec::new();
        proof {
            lemma_keys_differ();
            assert(object_map(entries@) =~= Map::empty());
        }
        put_text_or_null(&mut entries, "htv:fieldName", &self.field_name);
        put_text_or_null(&mut entries, "htv:fieldValue", &self.field_value);
        Ok(Value::Object(entries))
    }

    fn from_value(value: &Value) -> (read: Result<MessageHeader, Error>) {
        match value {
            Value::Object(entries) => {
                let field_name = match read_optional_text(entries, "htv:fieldName") {
                    Ok(field_name) => field_name,
                    Err(error) => {
                        return Err(error);
                    },
                };
                let field_value = match read_optional_text(entries, "htv:fieldValue") {
                    Ok(field_value) => field_value,
                    Err(error) => {
                        return Err(error);
                    },
                };
                Ok(MessageHeader { field_name, field_value })
            },
            _ => Err(Error::new(ErrorKind::SchemaViolation)),
        }
    }
}

impl WireLaws for MessageHeader {
    proof fn lemma_lawful() {
    }

    proof fn lemma_round_trip(model: MessageHeaderModel) {
        lemma_keys_differ();
    }

    proof fn lemma_encode_keys(model: MessageHeaderModel) {
    }

    proof fn lemma_decode_frame(a: Map<Seq<char>, Data>, b: Map<Seq<char>, Data>) {
        lemma_restrict_agrees(a, b, Self::keys(), "htv:fieldName"@);
        lemma_restrict_agrees(a, b, Self::keys(), "htv:fieldValue"@);
    }
}

impl Wire for Response {
    type Model = ResponseModel;

    open spec fn lawful() -> bool {
        true
    }

    open spec fn model(&self) -> ResponseModel {
        ResponseModel {
            headers: models(self.headers@),
            status_code_value: self.status_code_value,
        }
    }

    open spec fn keys() -> Set<Seq<char>> {
        set!["htv:headers"@, "htv:statusCodeValue"@]
    }

    /// A response is written as an object with the array of its headers and
    /// its status code; an absent status code is written as null.
    open spec fn encode(model: ResponseModel) -> Result<Data, Failure> {
        match under_key(encode_array::<MessageHeader>(model.headers), "htv:headers"@) {
            Err(failure) => Err(failure),
            Ok(headers) => Ok(
                Data::Object(
                    Map::empty().insert("htv:headers"@, headers).insert(
                        "htv:statusCodeValue"@,
                        count_or_null(model.status_code_value),
                    ),
                ),
            ),
        }
    }

    /// A response is read from an object that has an array of headers; the
    /// status code may be missing.
    open spec fn decode(data: Data) -> Result<ResponseModel, Failure> {
        match data {
            Data::Object(object) => if !object.contains_key("htv:headers"@) {
                Err(violation_at("htv:headers"@))
            } else {
                match under_key(
                    decode_array::<MessageHeader>(object["htv:headers"@]),
                    "htv:headers"@,
                ) {
                    Err(failure) => Err(failure),
                    Ok(headers) => match optional_count_at(object, "htv:statusCodeValue"@) {
                        Err(failure) => Err(failure),
                        Ok(status_code_value) => Ok(ResponseModel { headers, status_code_value }),
                    },
                }
            },
            _ => Err(Failure::root(ErrorKind::SchemaViolation)),
        }
    }

    fn field_names() -> (names: Vec<String>) {
        two_names("htv:headers", "htv:statusCodeValue")
    }

    fn to_value(&self) -> (written: Result<Value, Error>) {
        let headers = match write_all(&self.headers) {
            Ok(headers) => headers,
            Err(error) => {
                return Err(error.under_key("htv:headers"));
            },
        };
        let mut entries: Vec<(String, Value)> = Vec::new();
        proof {
            lemma_keys_differ();
            assert(object_map(entries@) =~= Map::empty());
        }
        put(&mut entries, "htv:headers", headers);
        put_count_or_null(&mut entries, "htv:statusCodeValue", self.status_code_value);
        Ok(Value::Object(entries))
    }

    fn from_value(value: &Value) -> (read: Result<Response, Error>) {
        match value {
            Value::Object(entries) => {
                let headers = match find(entries, "htv:headers") {
                    None => {
                        return Err(Error::new(ErrorKind::SchemaViolation).under_key("htv:headers"));
                    },
                    Some(headers) => match read_all::<MessageHeader>(headers) {
                        Ok(headers) => headers,
                        Err(error) => {
                            return Err(error.under_key("htv:headers"));
                        },
                    },
                };
                let status_code_value = match read_optional_count(entries, "htv:statusCodeValue") {
                    Ok(status_code_value) => status_code_value,
                    Err(error) => {
                        return Err(error);
                    },
                };
                Ok(Response { headers, status_code_value })
            },
            _ => Err(Error::new(ErrorKind::SchemaViolation)),
        }
    }
}

impl WireLaws for Response {
    proof fn lemma_lawful() {
    }

    proof fn lemma_round_trip(model: ResponseModel) {
        lemma_keys_differ();
        lemma_all_round_trip::<MessageHeader>(model.headers);
    }

    proof fn lemma_encode_keys(model: ResponseModel) {
    }

    proof fn lemma_decode_frame(a: Map<Seq<char>, Data>, b: Map<Seq<char>, Data>) {
        lemma_restrict_agrees(a, b, Self::keys(), "htv:headers"@);
        lemma_restrict_agrees(a, b, Self::keys(), "htv:statusCodeValue"@);
    }
}

/// The document of a method that may be absent, where absence is written as
/// null.
pub open spec fn method_or_null(method: Option<Method>) -> Data {
    match method {
        Some(method) => Data::Text(method_name(method)),
        None => Data::Null,
    }
}

impl Wire for Form {
    type Model = Option<Method>;

    open spec fn lawful() -> bool {
        true
    }

    open spec fn model(&self) -> Option<Method> {
        self.method_name
    }

    open spec fn keys() -> Set<Seq<char>> {
        set!["htv:methodName"@]
    }

    /// The HTTP part of a form is written as an object with the method; an
    /// absent method is written as null.
    open spec fn encode(model: Option<Method>) -> Result<Data, Failure> {
        Ok(Data::Object(Map::empty().insert("htv:methodName"@, method_or_null(model))))
    }

    /// The HTTP part of a form is read from an object; the method may be
    /// missing.
    open spec fn decode(data: Data) -> Result<Option<Method>, Failure> {
        match data {
            Data::Object(object) => if object.contains_key("htv:methodName"@)
                && object["htv:methodName"@] !is Null {
                match under_key(Method::decode(object["htv:methodName"@]), "htv:methodName"@) {
                    Ok(method) => Ok(Some(method)),
                    Err(failure) => Err(failure),
                }
            } else {
                Ok(None)
            },
            _ => Err(Failure::root(ErrorKind::SchemaViolation)),
        }
    }

    fn field_names() -> (names: Vec<String>) {
        let mut names: Vec<String> = Vec::new();
        names.push("htv:methodName".to_owned());
        proof {
            assert(names@[0]@ == "htv:methodName"@);
            assert(name_set(names@) =~= set!["htv:methodName"@]);
        }
        names
    }

    fn to_value(&self) -> (written: Result<Value, Error>) {
        let method = match &self.method_name {
            Some(method) => match method.to_value() {
                Ok(method) => method,
                Err(error) => {
                    return Err(error);
                },
            },
            None => Value::Null,
        };
        let mut entries: Vec<(String, Value)> = Vec::new();
        assert(object_map(entries@) =~= Map::empty());
        put(&mut entries, "htv:methodName", method);
        Ok(Value::Object(entries))
    }

    fn from_value(value: &Value) -> (read: Result<Form, Error>) {
        match value {
            Value::Object(entries) => match find(entries, "htv:methodName") {
                None => Ok(Form { method_name: None }),
                Some(Value::Null) => Ok(Form { method_name: None }),
                Some(method) => match Method::from_value(method) {
                    Ok(method) => Ok(Form { method_name: Some(method) }),
                    Err(error) => Err(error.under_key("htv:methodName")),
                },
            },
            _ => Err(Error::new(ErrorKind::SchemaViolation)),
        }
    }
}

impl WireLaws for Form {
    proof fn lemma_lawful() {
    }

    proof fn lemma_round_trip(model: Option<Method>) {
        if let Some(method) = model {
            lemma_method_names(method);
        }
    }

    proof fn lemma_encode_keys(model: Option<Method>) {
    }

    proof fn lemma_decode_frame(a: Map<Seq<char>, Data>, b: Map<Seq<char>, Data>) {
        lemma_restrict_agrees(a, b, Self::keys(), "htv:methodName"@);
    }
}

/// Builds a `Response`.
pub struct ResponseBuilder {
    pub headers: Vec<MessageHeader>,
    pub status_code_value: Option<usize>,
}

/// Builds a `Form`.
pub struct FormBuilder {
    pub method_name: Option<Method>,
}

impl Default for Response {
    fn default() -> (response: Self)
        ensures
            response.headers@.len() == 0,
            response.status_code_value is None,
    {
        Response { headers: Vec::new(), status_code_value: None }
    }
}

impl Default for Form {
    fn default() -> (form: Self)
        ensures
            form.method_name is None,
    {
        Form { method_name: None }
    }
}

impl Default for ResponseBuilder {
    fn default() -> (builder: Self)
        ensures
            builder.headers@.len() == 0,
            builder.status_code_value is None,
    {
        ResponseBuilder { headers: Vec::new(), status_code_value: None }
    }
}

impl Default for FormBuilder {
    fn default() -> (builder: Self)
        ensures
            builder.method_name is None,
    {
        FormBuilder { method_name: None }
    }
}

impl ResponseBuilder {
    /// Adds a header behind those that are there.
    pub fn headers(self, header: MessageHeader) -> (builder: Self)
        ensures
            builder.headers@ == self.headers@.push(header),
            builder.status_code_value == self.status_code_value,
    {
        let mut builder = self;
        builder.headers.push(header);
        builder
    }

    /// Sets the status code.
    pub fn status_code_value(self, value: usize) -> (builder: Self)
        ensures
            builder.headers == self.headers,
            builder.status_code_value == Some(value),
    {
        let mut builder = self;
        builder.status_code_value = Some(value);
        builder
    }
}

impl Builder for ResponseBuilder {
    type B = Response;

    open spec fn built(self) -> Response {
        Response { headers: self.headers, status_code_value: self.status_code_value }
    }

    fn build(self) -> Response {
        let ResponseBuilder { headers, status_code_value } = self;
        Response { headers, status_code_value }
    }
}

impl Buildable for Response {
    type B = ResponseBuilder;

    open spec fn fresh(builder: ResponseBuilder) -> bool {
        builder.headers@.len() == 0 && builder.status_code_value is None
    }

    fn builder() -> ResponseBuilder {
        ResponseBuilder::default()
    }
}

impl FormBuilder {
    /// Sets the method.
    pub fn method(self, method_name: Method) -> (builder: Self)
        ensures
            builder.method_name == Some(method_name),
    {
        let mut builder = self;
        builder.method_name = Some(method_name);

        builder
    }
}

impl Builder for FormBuilder {
    type B = Form;

    open spec fn built(self) -> Form {
        Form { method_name: self.method_name }
    }

    fn build(self) -> Form {
        let FormBuilder { method_name } = self;

        Form { method_name }
    }
}

impl Buildable for Form {
    type B = FormBuilder;

    open spec fn fresh(builder: FormBuilder) -> bool {
        builder.method_name is None
    }

    fn builder() -> FormBuilder {
        FormBuilder::default()
    }
}

} // verus!
