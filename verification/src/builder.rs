//! The builder protocol: every buildable record names its builder, and every
//! builder names the record it builds.

use vstd::prelude::*;
use crate::hlist::{Cons, Nil};

verus! {

/// A value that is filled in step by step and then turned into a record.
pub trait Builder: Default {
    /// The record that is built.
    type B;

    /// The record that `build` returns for this builder.
    spec fn built(self) -> Self::B;

    /// Consumes the builder and returns the record.
    fn build(self) -> (record: Self::B)
        ensures
            record == self.built(),
    ;
}

/// A record that can be made with a builder.
pub trait Buildable: Default {
    /// The builder of this record.
    type B: Builder;

    /// `builder` is a builder of this record on which no setter was called.
    spec fn fresh(builder: Self::B) -> bool;

    /// A builder on which no setter was called yet.
    fn builder() -> (builder: Self::B)
        ensures
            Self::fresh(builder),
    ;
}

impl Builder for Nil {
    type B = Nil;

    open spec fn built(self) -> Nil {
        Nil
    }

    fn build(self) -> Nil {
        Nil
    }
}

impl Buildable for Nil {
    type B = Nil;

    open spec fn fresh(builder: Nil) -> bool {
        builder == Nil
    }

    fn builder() -> (builder: Nil)
        ensures
            builder == Nil,
    {
        Nil
    }
}

/// A list of builders builds the list of their records.
impl<H: Builder, T: Builder> Builder for Cons<H, T> {
    type B = Cons<H::B, T::B>;

    open spec fn built(self) -> Cons<H::B, T::B> {
        Cons { head: self.head.built(), tail: self.tail.built() }
    }

    fn build(self) -> Cons<H::B, T::B> {
        let Cons { head, tail } = self;
        Cons { head: head.build(), tail: tail.build() }
    }
}

/// A list of records is built by the list of their builders.
impl<H: Buildable, T: Buildable> Buildable for Cons<H, T> {
    type B = Cons<H::B, T::B>;

    open spec fn fresh(builder: Cons<H::B, T::B>) -> bool {
        H::fresh(builder.head) && T::fresh(builder.tail)
    }

    fn builder() -> Cons<H::B, T::B> {
        Cons { head: H::builder(), tail: T::builder() }
    }
}

} // verus!
