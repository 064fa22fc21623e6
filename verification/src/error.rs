//! What is reported when a value cannot be written to or read from a document.

use vstd::prelude::*;

verus! {

/// The kinds of failure.
#[derive(Debug, Clone, Copy, PartialEq, Eq, Structural)]
pub enum ErrorKind {
    /// A required field is missing, or a field has the wrong shape.
    SchemaViolation,
    /// A string is none of the names of an enumeration.
    UnknownEnumVariant,
    /// Two parts that share one object both claim a key.
    KeyCollision,
    /// A part that shares an object with others is no object itself.
    NonObjectInFlatten,
    /// A field that holds one item or several holds neither.
    OneOrManyInvalid,
}

/// One step on the way from the root of a document to a value in it.
#[derive(Debug, Clone, PartialEq, Eq)]
pub enum Segment {
    /// Into the field of an object.
    Key(String),
    /// Into the item of an array.
    Index(usize),
}

/// The model of a `Segment`.
pub enum Step {
    Key(Seq<char>),
    Index(int),
}

impl View for Segment {
    type V = Step;

    open spec fn view(&self) -> Step {
        match self {
            Segment::Key(key) => Step::Key(key@),
            Segment::Index(index) => Step::Index(*index as int),
        }
    }
}

/// A failure: its kind and the place in the document where it arose.
#[derive(Debug, Clone, PartialEq, Eq)]
pub struct Error {
    pub kind: ErrorKind,
    pub path: Vec<Segment>,
}

/// The model of an `Error`.
pub struct Failure {
    pub kind: ErrorKind,
    pub path: Seq<Step>,
}

impl Failure {
    /// A failure at the root of the document.
    pub open spec fn root(kind: ErrorKind) -> Failure {
        Failure { kind, path: Seq::empty() }
    }

    /// The same failure, seen from one step further out.
    pub open spec fn under(self, step: Step) -> Failure {
        Failure { kind: self.kind, path: seq![step] + self.path }
    }
}

/// The models of the segments of a path, in order.
pub open spec fn steps(path: Seq<Segment>) -> Seq<Step> {
    Seq::new(path.len(), |i: int| path[i]@)
}

impl View for Error {
    type V = Failure;

    open spec fn view(&self) -> Failure {
        Failure { kind: self.kind, path: steps(self.path@) }
    }
}

/// The text that describes a kind of failure.
pub open spec fn kind_text(kind: ErrorKind) -> Seq<char> {
    match kind {
        ErrorKind::SchemaViolation => "a required field is missing or a value has the wrong shape"@,
        ErrorKind::UnknownEnumVariant => "a name is not one of the allowed names"@,
        ErrorKind::KeyCollision => "two parts of one object claim the same key"@,
        ErrorKind::NonObjectInFlatten => "a part of an object is not an object itself"@,
        ErrorKind::OneOrManyInvalid => "a field holds neither one item nor an array of items"@,
    }
}

impl Error {
    /// A failure of the given kind at the root of the document.
    pub fn new(kind: ErrorKind) -> (error: Error)
        ensures
            error@ == Failure::root(kind),
    {
        let error = Error { kind, path: Vec::new() };
        assert(steps(error.path@) =~= Seq::empty());
        error
    }

    /// The same failure, seen from the object that holds the failing value
    /// under `key`.
    pub fn under_key(self, key: &str) -> (error: Error)
        ensures
            error@ == self@.under(Step::Key(key@)),
    {
        let Error { kind, mut path } = self;
        let ghost before = path@;
        path.insert(0, Segment::Key(key.to_owned()));
        assert(steps(path@) =~= seq![Step::Key(key@)] + steps(before));
        Error { kind, path }
    }

    /// The same failure, seen from the array that holds the failing value at
    /// `index`.
    pub fn under_index(self, index: usize) -> (error: Error)
        ensures
            error@ == self@.under(Step::Index(index as int)),
    {
        let Error { kind, mut path } = self;
        let ghost before = path@;
        path.insert(0, Segment::Index(index));
        assert(steps(path@) =~= seq![Step::Index(index as int)] + steps(before));
        Error { kind, path }
    }

    /// A sentence that says what went wrong.
    pub fn message(&self) -> (text: String)
        ensures
            text@ == kind_text(self.kind),
    {
        match self.kind {
            ErrorKind::SchemaViolation => {
                "a required field is missing or a value has the wrong shape".to_owned()
            },
            ErrorKind::UnknownEnumVariant => "a name is not one of the allowed names".to_owned(),
            ErrorKind::KeyCollision => "two parts of one object claim the same key".to_owned(),
            ErrorKind::NonObjectInFlatten => {
                "a part of an object is not an object itself".to_owned()
            },
            ErrorKind::OneOrManyInvalid => {
                "a field holds neither one item nor an array of items".to_owned()
            },
        }
    }
}

} // verus!
