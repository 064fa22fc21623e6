use wot_forms::affordance::InteractionAffordance;
use wot_forms::builder::{Buildable, Builder};
use wot_forms::error::{ErrorKind, Segment};
use wot_forms::form::{DefaultedFormOperations, Form, FormOperation};
use wot_forms::hlist::{Cons, Nil};
use wot_forms::protocol::http;
use wot_forms::response::{AdditionalExpectedResponse, ExpectedResponse};
use wot_forms::value::{append, find, put, Value};
use wot_forms::wire::{disjoint, Wire};

fn sorted(value: Value) -> Value {
    match value {
        Value::Array(items) => Value::Array(items.into_iter().map(sorted).collect()),
        Value::Object(entries) => {
            let mut kept: Vec<(String, Value)> = Vec::new();
            for (key, value) in entries {
                if kept.iter().all(|(seen, _)| *seen != key) {
                    kept.push((key, sorted(value)));
                }
            }
            kept.sort_by(|a, b| a.0.cmp(&b.0));
            Value::Object(kept)
        }
        other => other,
    }
}

fn text(text: &str) -> Value {
    Value::Text(text.to_string())
}

fn object(entries: Vec<(&str, Value)>) -> Value {
    Value::Object(
        entries
            .into_iter()
            .map(|(key, value)| (key.to_string(), value))
            .collect(),
    )
}

fn header(name: &str, value: &str) -> http::MessageHeader {
    http::MessageHeader {
        field_name: Some(name.to_string()),
        field_value: Some(value.to_string()),
    }
}

fn full_form() -> Form<http::Form, http::Response> {
    Form::<http::Form, http::Response>::builder()
        .op(FormOperation::InvokeAction)
        .op(FormOperation::QueryAction)
        .href("/things")
        .content_type("application/td+json")
        .content_coding("gzip")
        .subprotocol("longpoll")
        .security("basic")
        .security("bearer")
        .scope("read")
        .response(
            ExpectedResponse::<http::Response>::builder()
                .content_type("application/ld+json")
                .other(|r| r.status_code_value(201).headers(header("Location", "/x")))
                .build(),
        )
        .additional_response(
            AdditionalExpectedResponse::<http::Response>::builder()
                .success(true)
                .content_type("application/problem+json")
                .other(|r| r.status_code_value(400))
                .build(),
        )
        .other(|f| f.method(http::Method::Post))
        .build()
}

#[test]
fn unit_identity() {
    let document = object(vec![
        ("htv:methodName", text("PUT")),
        ("unknown", Value::Int(1)),
    ]);
    let cell = Cons::<http::Form, Nil>::from_value(&document).unwrap();
    let alone = http::Form::from_value(&document).unwrap();
    assert_eq!(cell.head, alone);
    assert_eq!(
        sorted(cell.to_value().unwrap()),
        sorted(alone.to_value().unwrap())
    );
    assert_eq!(
        cell.to_value().unwrap(),
        object(vec![("htv:methodName", text("PUT"))])
    );
}

#[test]
fn flatten_is_associative() {
    let a = http::Form {
        method_name: Some(http::Method::Get),
    };
    let b = http::Response {
        headers: vec![header("Link", "</a>")],
        status_code_value: Some(200),
    };
    let c = header("Accept", "text/plain");
    let right = Cons {
        head: a.clone(),
        tail: Cons {
            head: b.clone(),
            tail: c.clone(),
        },
    };
    let left = Cons {
        head: Cons { head: a, tail: b },
        tail: c,
    };
    assert_eq!(
        sorted(right.to_value().unwrap()),
        sorted(left.to_value().unwrap())
    );
    assert_eq!(right.to_value().unwrap(), left.to_value().unwrap());
    assert_eq!(
        Cons::<http::Form, Cons<http::Response, http::MessageHeader>>::field_names(),
        Cons::<Cons<http::Form, http::Response>, http::MessageHeader>::field_names()
    );
}

#[test]
fn round_trip() {
    let form = full_form();
    let written = form.to_value().unwrap();
    assert_eq!(
        Form::<http::Form, http::Response>::from_value(&written).unwrap(),
        form
    );
    assert_eq!(
        sorted(written),
        sorted(object(vec![
            ("op", Value::Array(vec![text("invokeaction"), text("queryaction")])),
            ("href", text("/things")),
            ("contentType", text("application/td+json")),
            ("contentCoding", text("gzip")),
            ("subprotocol", text("longpoll")),
            ("security", Value::Array(vec![text("basic"), text("bearer")])),
            ("scopes", Value::Array(vec![text("read")])),
            (
                "response",
                object(vec![
                    ("contentType", text("application/ld+json")),
                    (
                        "htv:headers",
                        Value::Array(vec![object(vec![
                            ("htv:fieldName", text("Location")),
                            ("htv:fieldValue", text("/x")),
                        ])]),
                    ),
                    ("htv:statusCodeValue", Value::Int(201)),
                ]),
            ),
            (
                "additionalResponse",
                object(vec![
                    ("success", Value::Bool(true)),
                    ("contentType", text("application/problem+json")),
                    ("htv:headers", Value::Array(vec![])),
                    ("htv:statusCodeValue", Value::Int(400)),
                ]),
            ),
            ("htv:methodName", text("POST")),
        ]))
    );
}

#[test]
fn round_trip_of_a_list_of_extensions() {
    let list = Cons::new_head(http::Response {
        headers: vec![],
        status_code_value: None,
    })
    .add(http::Form {
        method_name: Some(http::Method::Delete),
    });
    let written = list.to_value().unwrap();
    assert_eq!(
        Cons::<http::Form, Cons<http::Response, Nil>>::from_value(&written).unwrap(),
        list
    );
}

#[test]
fn round_trip_of_an_affordance() {
    let affordance = InteractionAffordance::<http::Form, http::Form, http::Response>::builder()
        .attype("Thing")
        .attype("Lamp")
        .title("lamp")
        .description("a lamp")
        .form(full_form())
        .form(
            Form::<http::Form, http::Response>::builder()
                .href("/off")
                .build(),
        )
        .other(|f| f.method(http::Method::Get))
        .build();
    let written = affordance.to_value().unwrap();
    assert_eq!(
        InteractionAffordance::<http::Form, http::Form, http::Response>::from_value(&written)
            .unwrap(),
        affordance
    );
    match &written {
        Value::Object(entries) => {
            assert_eq!(
                find(entries, "@type"),
                Some(&Value::Array(vec![text("Thing"), text("Lamp")]))
            );
            assert_eq!(find(entries, "title"), Some(&text("lamp")));
            assert_eq!(find(entries, "htv:methodName"), Some(&text("GET")));
            assert!(matches!(find(entries, "forms"), Some(Value::Array(forms)) if forms.len() == 2));
        }
        _ => panic!("an affordance is written as an object"),
    }
}

#[test]
fn affordance_reads_one_tag_or_many() {
    let one = object(vec![("@type", text("Lamp")), ("forms", Value::Array(vec![]))]);
    let many = object(vec![
        ("@type", Value::Array(vec![text("Lamp")])),
        ("forms", Value::Array(vec![])),
    ]);
    let one: InteractionAffordance = InteractionAffordance::from_value(&one).unwrap();
    let many: InteractionAffordance = InteractionAffordance::from_value(&many).unwrap();
    assert_eq!(one, many);
    assert_eq!(one.attype, Some(vec!["Lamp".to_string()]));
    assert_eq!(one.title, None);
    let missing = InteractionAffordance::<Nil, Nil, Nil>::from_value(&object(vec![]));
    let error = missing.unwrap_err();
    assert_eq!(error.kind, ErrorKind::SchemaViolation);
    assert_eq!(error.path, vec![Segment::Key("forms".to_string())]);
    let broken = InteractionAffordance::<Nil, Nil, Nil>::from_value(&object(vec![(
        "forms",
        Value::Array(vec![object(vec![("href", text("/"))]), object(vec![])]),
    )]));
    assert_eq!(
        broken.unwrap_err().path,
        vec![
            Segment::Key("forms".to_string()),
            Segment::Index(1),
            Segment::Key("href".to_string())
        ]
    );
}

#[test]
fn builder_other_is_a_homomorphism() {
    let step = |r: http::ResponseBuilder| r.status_code_value(201);
    let built = ExpectedResponse::<http::Response>::builder()
        .other(step)
        .build();
    let extension = step(http::Response::builder()).build();
    assert_eq!(
        built,
        ExpectedResponse {
            content_type: String::new(),
            other: extension
        }
    );
    let built = Form::<http::Form, Nil>::builder()
        .other(|f| f.method(http::Method::Put))
        .build();
    assert_eq!(
        built.other,
        http::Form::builder().method(http::Method::Put).build()
    );
    assert_eq!(built.op, DefaultedFormOperations::Default);
    assert_eq!(built.content_type, "application/json");
}

#[test]
fn nil_is_its_own_builder() {
    assert_eq!(Nil::builder(), Nil);
    assert_eq!(Nil.build(), Nil);
    let built = ExpectedResponse::<Cons<http::Response, Nil>>::default();
    assert_eq!(built.other.head.status_code_value, None);
}

#[test]
fn first_entry_of_a_key_counts() {
    let mut entries = vec![("a".to_string(), Value::Int(1))];
    put(&mut entries, "b", Value::Int(2));
    append(
        &mut entries,
        vec![
            ("a".to_string(), Value::Int(3)),
            ("c".to_string(), Value::Int(4)),
        ],
    );
    assert_eq!(find(&entries, "a"), Some(&Value::Int(1)));
    assert_eq!(find(&entries, "b"), Some(&Value::Int(2)));
    assert_eq!(find(&entries, "c"), Some(&Value::Int(4)));
    assert_eq!(find(&entries, "d"), None);
}

#[test]
fn names_are_compared_by_their_text() {
    let first = vec!["a".to_string(), "b".to_string()];
    let second = vec!["c".to_string(), "b".to_string()];
    assert!(!disjoint(&first, &second));
    assert!(disjoint(&first, &vec!["c".to_string()]));
    assert!(disjoint(&first, &Vec::new()));
    assert_eq!(
        Form::<http::Form, Nil>::field_names(),
        vec![
            "op",
            "href",
            "contentType",
            "contentCoding",
            "subprotocol",
            "security",
            "scopes",
            "response",
            "additionalResponse",
            "htv:methodName"
        ]
    );
}

#[test]
fn forms_start_with_the_default_content_type() {
    assert_eq!(wot_forms::form::default_content_type(), "application/json");
    assert_eq!(Form::<Nil, Nil>::default().content_type, "application/json");
    assert_eq!(
        Form::<Nil, Nil>::builder().build(),
        Form::<Nil, Nil>::default()
    );
    assert_eq!(
        InteractionAffordance::<Nil, Nil, Nil>::builder().build(),
        InteractionAffordance::<Nil, Nil, Nil>::default()
    );
}
