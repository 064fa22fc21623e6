use wot_forms::builder::{Buildable, Builder};
use wot_forms::error::{ErrorKind, Segment};
use wot_forms::form::{DefaultedFormOperations, Form, FormOperation};
use wot_forms::hlist::{Cons, Nil};
use wot_forms::protocol::http;
use wot_forms::response::{AdditionalExpectedResponse, ExpectedResponse};
use wot_forms::value::Value;
use wot_forms::wire::Wire;

fn from_json(json: &serde_json::Value) -> Value {
    match json {
        serde_json::Value::Null => Value::Null,
        serde_json::Value::Bool(flag) => Value::Bool(*flag),
        serde_json::Value::Number(n) => match n.as_i64() {
            Some(n) => Value::Int(n.into()),
            None => Value::Int(n.as_u64().unwrap().into()),
        },
        serde_json::Value::String(text) => Value::Text(text.clone()),
        serde_json::Value::Array(items) => Value::Array(items.iter().map(from_json).collect()),
        serde_json::Value::Object(object) => Value::Object(
            object
                .iter()
                .map(|(key, value)| (key.clone(), from_json(value)))
                .collect(),
        ),
    }
}

fn to_json(value: &Value) -> serde_json::Value {
    match value {
        Value::Null => serde_json::Value::Null,
        Value::Bool(flag) => serde_json::Value::Bool(*flag),
        Value::Int(n) => serde_json::Value::Number(i64::try_from(*n).unwrap().into()),
        Value::Text(text) => serde_json::Value::String(text.clone()),
        Value::Array(items) => serde_json::Value::Array(items.iter().map(to_json).collect()),
        Value::Object(entries) => {
            let mut object = serde_json::Map::new();
            for (key, value) in entries {
                if !object.contains_key(key) {
                    object.insert(key.clone(), to_json(value));
                }
            }
            serde_json::Value::Object(object)
        }
    }
}

fn parse(text: &str) -> Value {
    from_json(&serde_json::from_str::<serde_json::Value>(text).unwrap())
}

fn json(text: &str) -> serde_json::Value {
    serde_json::from_str(text).unwrap()
}

const PROPERTY: &str = r#"
        {
            "href": "/things{?offset,limit,format,sort_by,sort_order}",
            "htv:methodName": "GET",
            "response": {
                "description": "Success response",
                "htv:statusCodeValue": 200,
                "contentType": "application/ld+json",
                "htv:headers": [
                    {
                        "htv:fieldName": "Link"
                    }
                ]
            },
            "additionalResponses": [
                {
                    "description": "Invalid query arguments",
                    "contentType": "application/problem+json",
                    "htv:statusCodeValue": 400
                }
            ]
        }
        "#;

#[test]
fn build_response() {
    let b = ExpectedResponse::<Nil>::builder()
        .content_type("text/foo")
        .build();

    assert_eq!(
        b,
        ExpectedResponse {
            content_type: "text/foo".to_string(),
            other: Nil
        }
    );

    let b = ExpectedResponse::<http::Response>::builder()
        .content_type("text/bar")
        .other(|v| v.status_code_value(201))
        .build();

    assert_eq!(b.content_type, "text/bar");
    assert_eq!(b.other.status_code_value, Some(201));
    assert!(b.other.headers.is_empty());
}

fn deserialize_form(s: &str) {
    let document = parse(s);

    let f = http::Form::from_value(&document).unwrap();
    assert_eq!(f.method_name, Some(http::Method::Get));

    let f: Form = Form::from_value(&document).unwrap();
    assert_eq!(f.href, "/things{?offset,limit,format,sort_by,sort_order}");
    assert_eq!(f.response.unwrap().content_type, "application/ld+json");

    let f: Form<http::Form> = Form::from_value(&document).unwrap();
    assert_eq!(f.other.method_name, Some(http::Method::Get));

    let f: Form<http::Form, http::Response> = Form::from_value(&document).unwrap();
    assert_eq!(f.href, "/things{?offset,limit,format,sort_by,sort_order}");
    assert_eq!(f.other.method_name, Some(http::Method::Get));
    assert_eq!(f.op, DefaultedFormOperations::Default);
    assert_eq!(f.content_type, "application/json");
    assert_eq!(f.additional_response, None);
    let response = f.response.unwrap();
    assert_eq!(response.content_type, "application/ld+json");
    assert_eq!(response.other.status_code_value, Some(200));
    assert_eq!(
        response.other.headers,
        vec![http::MessageHeader {
            field_name: Some("Link".to_string()),
            field_value: None,
        }]
    );
}

#[test]
fn deserialize_discovery_property() {
    deserialize_form(PROPERTY);
}

#[test]
fn form_in_a_cell_reads_like_the_form() {
    let document = parse(PROPERTY);
    let f: Form<Cons<http::Form, Nil>> = Form::from_value(&document).unwrap();
    assert_eq!(f.other.head.method_name, Some(http::Method::Get));
}

#[test]
fn default_content_type() {
    let f: Form = Form::from_value(&parse("{\"href\":\"/\"}")).unwrap();
    assert_eq!(f.content_type, "application/json");
    assert_eq!(
        to_json(&f.to_value().unwrap()),
        json(r#"{ "href": "/", "contentType": "application/json" }"#)
    );
}

#[test]
fn method_vocabulary() {
    assert_eq!(
        http::Method::Post.to_value().unwrap(),
        Value::Text("POST".to_string())
    );
    assert_eq!(
        http::Method::from_value(&Value::Text("DELETE".to_string())).unwrap(),
        http::Method::Delete
    );
    let error = http::Method::from_value(&Value::Text("patch".to_string())).unwrap_err();
    assert_eq!(error.kind, ErrorKind::UnknownEnumVariant);
    let error = http::Method::from_value(&Value::Int(1)).unwrap_err();
    assert_eq!(error.kind, ErrorKind::SchemaViolation);
    for method in [
        http::Method::Get,
        http::Method::Put,
        http::Method::Post,
        http::Method::Delete,
        http::Method::Patch,
    ] {
        assert_eq!(
            http::Method::from_value(&method.to_value().unwrap()).unwrap(),
            method
        );
    }
}

#[test]
fn unknown_method_is_reported_under_its_key() {
    let error = http::Form::from_value(&parse(r#"{ "htv:methodName": "patch" }"#)).unwrap_err();
    assert_eq!(error.kind, ErrorKind::UnknownEnumVariant);
    assert_eq!(error.path, vec![Segment::Key("htv:methodName".to_string())]);
    assert_eq!(error.message(), "a name is not one of the allowed names");
}

#[test]
fn one_or_many_is_normalized() {
    let one: Form = Form::from_value(&parse(r#"{ "href": "/", "security": "basic" }"#)).unwrap();
    let many: Form =
        Form::from_value(&parse(r#"{ "href": "/", "security": ["basic"] }"#)).unwrap();
    assert_eq!(one, many);
    assert_eq!(one.security, Some(vec!["basic".to_string()]));
    assert_eq!(
        to_json(&one.to_value().unwrap()),
        json(r#"{ "href": "/", "contentType": "application/json", "security": ["basic"] }"#)
    );
}

#[test]
fn one_or_many_refuses_other_shapes() {
    let error = Form::<Nil, Nil>::from_value(&parse(r#"{ "href": "/", "scopes": 5 }"#));
    let error = error.unwrap_err();
    assert_eq!(error.kind, ErrorKind::OneOrManyInvalid);
    assert_eq!(error.path, vec![Segment::Key("scopes".to_string())]);
    let error = Form::<Nil, Nil>::from_value(&parse(r#"{ "href": "/", "scopes": ["a", 5] }"#));
    assert_eq!(error.unwrap_err().kind, ErrorKind::OneOrManyInvalid);
    assert_eq!(
        error_message(ErrorKind::OneOrManyInvalid),
        "a field holds neither one item nor an array of items"
    );
}

fn error_message(kind: ErrorKind) -> String {
    wot_forms::error::Error::new(kind).message()
}

#[test]
fn operations_are_read_by_name() {
    let f: Form = Form::from_value(&parse(r#"{ "href": "/", "op": "readproperty" }"#)).unwrap();
    assert_eq!(
        f.op,
        DefaultedFormOperations::Custom(vec![FormOperation::ReadProperty])
    );
    let f: Form = Form::from_value(&parse(
        r#"{ "href": "/", "op": ["writeproperty", "unsubscribeallevents"] }"#,
    ))
    .unwrap();
    assert_eq!(
        f.op,
        DefaultedFormOperations::Custom(vec![
            FormOperation::WriteProperty,
            FormOperation::UnsubscribeAllEvents
        ])
    );
    assert_eq!(
        to_json(&f.to_value().unwrap()),
        json(
            r#"{ "href": "/", "contentType": "application/json",
                 "op": ["writeproperty", "unsubscribeallevents"] }"#
        )
    );
    let error = Form::<Nil, Nil>::from_value(&parse(r#"{ "href": "/", "op": "fly" }"#));
    let error = error.unwrap_err();
    assert_eq!(error.kind, ErrorKind::UnknownEnumVariant);
    assert_eq!(error.path, vec![Segment::Key("op".to_string())]);
}

#[test]
fn every_operation_is_read_back() {
    let operations = vec![
        FormOperation::ReadProperty,
        FormOperation::WriteProperty,
        FormOperation::ObserveProperty,
        FormOperation::UnobserveProperty,
        FormOperation::InvokeAction,
        FormOperation::QueryAction,
        FormOperation::CancelAction,
        FormOperation::SubscribeEvent,
        FormOperation::UnsubscribeEvent,
        FormOperation::ReadAllProperties,
        FormOperation::WriteAllProperties,
        FormOperation::ReadMultipleProperties,
        FormOperation::WriteMultipleProperties,
        FormOperation::ObserveAllProperties,
        FormOperation::UnobserveAllProperties,
        FormOperation::QueryAllActions,
        FormOperation::SubscribeAllEvents,
        FormOperation::UnsubscribeAllEvents,
    ];
    for operation in &operations {
        let name = wot_forms::form::name_of(*operation);
        assert_eq!(wot_forms::form::named(&name), Some(*operation));
    }
    let form = Form::<Nil, Nil>::builder().href("/all");
    let form = operations.iter().fold(form, |form, op| form.op(*op)).build();
    assert_eq!(form.op, DefaultedFormOperations::Custom(operations));
    assert_eq!(Form::from_value(&form.to_value().unwrap()).unwrap(), form);
}

#[test]
fn missing_target_is_a_schema_violation() {
    let error = Form::<Nil, Nil>::from_value(&parse(r#"{ "contentType": "text/plain" }"#));
    let error = error.unwrap_err();
    assert_eq!(error.kind, ErrorKind::SchemaViolation);
    assert_eq!(error.path, vec![Segment::Key("href".to_string())]);
    assert_eq!(
        error.message(),
        "a required field is missing or a value has the wrong shape"
    );
    let error = Form::<Nil, Nil>::from_value(&parse(r#"{ "href": {} }"#)).unwrap_err();
    assert_eq!(error.kind, ErrorKind::SchemaViolation);
    let error = Form::<Nil, Nil>::from_value(&parse(r#"["href"]"#)).unwrap_err();
    assert_eq!(error.kind, ErrorKind::SchemaViolation);
    assert!(error.path.is_empty());
}

#[test]
fn failures_carry_the_path_to_the_value() {
    let error = Form::<Nil, http::Response>::from_value(&parse(
        r#"{ "href": "/",
             "response": { "contentType": "a/b",
                           "htv:headers": [ {}, { "htv:fieldName": 7 } ] } }"#,
    ))
    .unwrap_err();
    assert_eq!(error.kind, ErrorKind::SchemaViolation);
    assert_eq!(
        error.path,
        vec![
            Segment::Key("response".to_string()),
            Segment::Key("htv:headers".to_string()),
            Segment::Index(1),
            Segment::Key("htv:fieldName".to_string()),
        ]
    );
}

#[test]
fn status_code_is_a_count() {
    let read = http::Response::from_value(&parse(
        r#"{ "htv:headers": [], "htv:statusCodeValue": 404 }"#,
    ));
    assert_eq!(read.unwrap().status_code_value, Some(404));
    let read = http::Response::from_value(&parse(r#"{ "htv:headers": [] }"#));
    assert_eq!(read.unwrap().status_code_value, None);
    let read = http::Response::from_value(&parse(
        r#"{ "htv:headers": [], "htv:statusCodeValue": null }"#,
    ));
    assert_eq!(read.unwrap().status_code_value, None);
    let read = http::Response::from_value(&parse(
        r#"{ "htv:headers": [], "htv:statusCodeValue": -1 }"#,
    ));
    assert_eq!(read.unwrap_err().kind, ErrorKind::SchemaViolation);
    let read = http::Response::from_value(&parse(r#"{ "htv:statusCodeValue": 200 }"#));
    let error = read.unwrap_err();
    assert_eq!(error.kind, ErrorKind::SchemaViolation);
    assert_eq!(error.path, vec![Segment::Key("htv:headers".to_string())]);
}

#[test]
fn http_vocabulary_is_written_with_its_prefix() {
    let response = http::Response::builder()
        .headers(http::MessageHeader {
            field_name: Some("Location".to_string()),
            field_value: None,
        })
        .status_code_value(201)
        .build();
    assert_eq!(
        to_json(&response.to_value().unwrap()),
        json(
            r#"{ "htv:headers": [ { "htv:fieldName": "Location", "htv:fieldValue": null } ],
                 "htv:statusCodeValue": 201 }"#
        )
    );
    let form = http::Form::builder().method(http::Method::Patch).build();
    assert_eq!(
        to_json(&form.to_value().unwrap()),
        json(r#"{ "htv:methodName": "PATCH" }"#)
    );
    assert_eq!(
        to_json(&http::Form::default().to_value().unwrap()),
        json(r#"{ "htv:methodName": null }"#)
    );
}

#[test]
fn additional_response_defaults_to_no_success() {
    let read = AdditionalExpectedResponse::<http::Response>::from_value(&parse(
        r#"{ "contentType": "application/problem+json",
             "htv:headers": [], "htv:statusCodeValue": 400 }"#,
    ))
    .unwrap();
    assert!(!read.success);
    assert_eq!(read.content_type, "application/problem+json");
    assert_eq!(read.other.status_code_value, Some(400));
    assert_eq!(
        to_json(&read.to_value().unwrap()),
        json(
            r#"{ "success": false, "contentType": "application/problem+json",
                 "htv:headers": [], "htv:statusCodeValue": 400 }"#
        )
    );
    let read = AdditionalExpectedResponse::<Nil>::from_value(&parse(
        r#"{ "contentType": "a/b", "success": "yes" }"#,
    ));
    assert_eq!(read.unwrap_err().kind, ErrorKind::SchemaViolation);
}

#[test]
fn extension_that_is_no_object_is_refused() {
    let list = Cons::new_head(http::Method::Get);
    let error = list.to_value().unwrap_err();
    assert_eq!(error.kind, ErrorKind::NonObjectInFlatten);
    assert_eq!(
        error.message(),
        "a part of an object is not an object itself"
    );
}

#[test]
fn extension_that_claims_a_key_of_the_record_is_refused() {
    let form = Form::<ExpectedResponse<Nil>, Nil>::builder().build();
    let error = form.to_value().unwrap_err();
    assert_eq!(error.kind, ErrorKind::KeyCollision);
    assert_eq!(error.message(), "two parts of one object claim the same key");
    let read = Form::<ExpectedResponse<Nil>, Nil>::from_value(&parse(
        r#"{ "href": "/", "contentType": "a/b" }"#,
    ));
    assert_eq!(read.unwrap_err().kind, ErrorKind::KeyCollision);
}
