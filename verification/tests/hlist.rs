use wot_forms::error::{Error, ErrorKind};
use wot_forms::hlist::{Cons, Nil};
use wot_forms::value::{find, Value};
use wot_forms::wire::{flatten_into, Wire};

fn to_json(value: &Value) -> serde_json::Value {
    match value {
        Value::Null => serde_json::Value::Null,
        Value::Bool(flag) => serde_json::Value::Bool(*flag),
        Value::Int(n) => serde_json::Value::Number(i64::try_from(*n).unwrap().into()),
        Value::Text(text) => serde_json::Value::String(text.clone()),
        Value::Array(items) => serde_json::Value::Array(items.iter().map(to_json).collect()),
        Value::Object(entries) => {
            let mut object = serde_json::Map::new();
            for (key, value) in entries {
                if !object.contains_key(key) {
                    object.insert(key.clone(), to_json(value));
                }
            }
            serde_json::Value::Object(object)
        }
    }
}

fn from_json(json: &serde_json::Value) -> Value {
    match json {
        serde_json::Value::Null => Value::Null,
        serde_json::Value::Bool(flag) => Value::Bool(*flag),
        serde_json::Value::Number(n) => match n.as_i64() {
            Some(n) => Value::Int(n.into()),
            None => Value::Int(n.as_u64().unwrap().into()),
        },
        serde_json::Value::String(text) => Value::Text(text.clone()),
        serde_json::Value::Array(items) => Value::Array(items.iter().map(from_json).collect()),
        serde_json::Value::Object(object) => Value::Object(
            object
                .iter()
                .map(|(key, value)| (key.clone(), from_json(value)))
                .collect(),
        ),
    }
}

fn entries(value: &Value) -> Result<&Vec<(String, Value)>, Error> {
    match value {
        Value::Object(entries) => Ok(entries),
        _ => Err(Error::new(ErrorKind::SchemaViolation)),
    }
}

fn int_at(value: &Value, key: &str) -> Result<i128, Error> {
    match find(entries(value)?, key) {
        Some(Value::Int(n)) => Ok(*n),
        _ => Err(Error::new(ErrorKind::SchemaViolation).under_key(key)),
    }
}

fn text_at(value: &Value, key: &str) -> Result<String, Error> {
    match find(entries(value)?, key) {
        Some(Value::Text(text)) => Ok(text.clone()),
        _ => Err(Error::new(ErrorKind::SchemaViolation).under_key(key)),
    }
}

#[derive(Debug)]
struct Bar {
    bar: String,
}

impl Wire for Bar {
    type Model = ();

    fn field_names() -> Vec<String> {
        vec!["bar".to_string()]
    }

    fn to_value(&self) -> Result<Value, Error> {
        Ok(Value::Object(vec![(
            "bar".to_string(),
            Value::Text(self.bar.clone()),
        )]))
    }

    fn from_value(value: &Value) -> Result<Self, Error> {
        Ok(Bar {
            bar: text_at(value, "bar")?,
        })
    }
}

#[derive(Debug)]
struct Foo {
    foo: usize,
}

impl Wire for Foo {
    type Model = ();

    fn field_names() -> Vec<String> {
        vec!["foo".to_string()]
    }

    fn to_value(&self) -> Result<Value, Error> {
        Ok(Value::Object(vec![(
            "foo".to_string(),
            Value::Int(self.foo as i128),
        )]))
    }

    fn from_value(value: &Value) -> Result<Self, Error> {
        Ok(Foo {
            foo: int_at(value, "foo")? as usize,
        })
    }
}

#[derive(Debug)]
struct Outer<T> {
    a: i32,
    b: T,
}

impl<T: Wire> Wire for Outer<T> {
    type Model = ();

    fn field_names() -> Vec<String> {
        let mut names = vec!["a".to_string()];
        names.extend(T::field_names());
        names
    }

    fn to_value(&self) -> Result<Value, Error> {
        flatten_into(vec![("a".to_string(), Value::Int(self.a.into()))], &self.b)
    }

    fn from_value(value: &Value) -> Result<Self, Error> {
        Ok(Outer {
            a: int_at(value, "a")? as i32,
            b: T::from_value(value)?,
        })
    }
}

#[test]
fn split_head() {
    #[derive(Debug, PartialEq)]
    struct A(i32);

    #[derive(Debug, PartialEq)]
    struct B(f32);

    #[derive(Debug, PartialEq)]
    struct C(String);

    let list = Cons::new_head(A(42)).add(B(1.234)).add(C("C".to_string()));

    assert_eq!(
        list.split_head(),
        (C("C".to_string()), Cons::new_head(A(42)).add(B(1.234))),
    )
}

#[test]
fn chain() {
    let list = Cons::new_head("A").add(2).add("C".to_string());

    assert_eq!(
        list,
        Cons {
            head: "C".to_string(),
            tail: Cons {
                head: 2,
                tail: Cons {
                    head: "A",
                    tail: Nil,
                },
            }
        }
    );
}

#[test]
fn serialize_flatten_nil() {
    let value = to_json(&Outer { a: 42, b: Nil {} }.to_value().unwrap());
    assert_eq!(value.get("a").unwrap(), &serde_json::Value::Number(42.into()));
    assert!(value.get("b").is_none());
}

#[test]
fn serialize_cons() {
    let value = to_json(
        &Outer {
            a: 42,
            b: Cons::new_head(Foo { foo: 42 }).add(Bar {
                bar: "42".to_string(),
            }),
        }
        .to_value()
        .unwrap(),
    );
    assert_eq!(value.get("a").unwrap(), &serde_json::Value::Number(42.into()));
    assert_eq!(
        value.get("foo").unwrap(),
        &serde_json::Value::Number(42.into())
    );
}

#[test]
fn deserialize_cons() {
    let v: serde_json::Value = serde_json::from_str(
        r#"{
            "a": 42,
            "foo": 42,
            "bar": "42"
        }"#,
    )
    .unwrap();

    let a: Outer<Cons<Cons<Foo, Bar>, Nil>> = Outer::from_value(&from_json(&v)).unwrap();

    assert_eq!(a.a, 42);
    assert_eq!(a.b.head.head.foo, 42);
    assert_eq!(a.b.head.tail.bar, String::from("42"));
}

#[test]
fn empty_flatten_writes_exactly_the_field() {
    let v: serde_json::Value = serde_json::from_str(r#"{ "a": 42 }"#).unwrap();
    let a: Outer<Nil> = Outer::from_value(&from_json(&v)).unwrap();
    assert_eq!(a.a, 42);
    assert_eq!(to_json(&a.to_value().unwrap()), v);
}

#[test]
fn serialize_cons_has_every_field_once() {
    let value = Outer {
        a: 42,
        b: Cons::new_head(Foo { foo: 42 }).add(Bar {
            bar: "42".to_string(),
        }),
    }
    .to_value()
    .unwrap();
    assert_eq!(
        value,
        Value::Object(vec![
            ("a".to_string(), Value::Int(42)),
            ("bar".to_string(), Value::Text("42".to_string())),
            ("foo".to_string(), Value::Int(42)),
        ])
    );
}

#[test]
fn nil_is_the_empty_object() {
    assert_eq!(Nil.to_value().unwrap(), Value::Object(Vec::new()));
    assert_eq!(Nil::field_names(), Vec::<String>::new());
    assert_eq!(
        Nil::from_value(&Value::Object(vec![("x".to_string(), Value::Int(1))])).unwrap(),
        Nil
    );
    let error = Nil::from_value(&Value::Int(1)).unwrap_err();
    assert_eq!(error.kind, ErrorKind::SchemaViolation);
    assert!(error.path.is_empty());
}

#[test]
fn nil_converts_to_and_from_unit() {
    assert_eq!(Nil::from(()), Nil);
    let unit: () = Nil.into();
    assert_eq!(unit, ());
    assert_eq!(Nil::default(), Nil);
}

#[test]
fn colliding_cells_are_refused() {
    let list = Cons::new_head(Foo { foo: 1 }).add(Foo { foo: 2 });
    assert_eq!(list.to_value().unwrap_err().kind, ErrorKind::KeyCollision);
    let value = Value::Object(vec![("foo".to_string(), Value::Int(1))]);
    let read = Cons::<Foo, Cons<Foo, Nil>>::from_value(&value);
    assert_eq!(read.unwrap_err().kind, ErrorKind::KeyCollision);
}

#[test]
fn cell_is_read_from_objects_only() {
    let read = Cons::<Foo, Nil>::from_value(&Value::Array(Vec::new()));
    assert_eq!(read.unwrap_err().kind, ErrorKind::SchemaViolation);
}
