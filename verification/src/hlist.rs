//! Heterogeneous lists: a chain of `Cons` cells ending in `Nil`.
//!
//! Every element may have a type of its own; the type of the list records them
//! all, so its length and the type at each position are known statically.

use vstd::prelude::*;
use vstd::std_specs::convert::FromSpecImpl;

verus! {

/// The empty list, and the tail of every list.
#[derive(Debug, Clone, Copy, PartialEq, Eq, Structural)]
pub struct Nil;

/// A list cell: one element and the rest of the list.
#[derive(Debug, Clone, Copy, PartialEq, Eq)]
pub struct Cons<T, U = Nil> {
    pub head: T,
    pub tail: U,
}

/// The number of elements of a list type.
pub trait HList {
    spec fn depth() -> nat;
}

impl HList for Nil {
    open spec fn depth() -> nat {
        0
    }
}

impl<'a> HList for &'a Nil {
    open spec fn depth() -> nat {
        0
    }
}

impl<'a> HList for &'a mut Nil {
    open spec fn depth() -> nat {
        0
    }
}

impl<T, U: HList> HList for Cons<T, U> {
    open spec fn depth() -> nat {
        1 + U::depth()
    }
}

impl Default for Nil {
    fn default() -> (nil: Self)
        ensures
            nil == Nil,
    {
        Nil
    }
}

impl<H: Default, T: Default> Default for Cons<H, T> {
    fn default() -> (list: Self)
        ensures
            call_ensures(H::default, (), list.head),
            call_ensures(T::default, (), list.tail),
    {
        Cons { head: H::default(), tail: T::default() }
    }
}

impl<T> Cons<T, Nil> {
    /// The list that holds `head` alone.
    pub fn new_head(head: T) -> (list: Self)
        ensures
            list == (Cons { head, tail: Nil }),
    {
        Cons { head, tail: Nil }
    }
}

impl<T, U> Cons<T, U> {
    /// Puts `value` in front of the list.
    pub fn add<V>(self, value: V) -> (list: Cons<V, Self>)
        ensures
            list == (Cons { head: value, tail: self }),
    {
        Cons { head: value, tail: self }
    }

    /// Takes the list apart into its first element and the rest.
    pub fn split_head(self) -> (parts: (T, U))
        ensures
            parts == (self.head, self.tail),
    {
        let Cons { head, tail } = self;
        (head, tail)
    }
}

/// Borrowing a list element by element.
pub trait ToRef<'a>: HList + Sized {
    /// The list of shared references to the elements.
    type Ref: 'a + HList;

    /// The list of mutable references to the elements.
    type Mut: 'a + HList;

    /// `refs` holds, position by position, the elements of `list`.
    spec fn borrowed(refs: Self::Ref, list: Self) -> bool;

    /// The values behind `muts` are, position by position, the elements of
    /// `list`.
    spec fn borrowed_mut(muts: Self::Mut, list: Self) -> bool;

    /// The borrowed lists are as long as the list itself.
    proof fn lemma_borrow_depth()
        ensures
            Self::Ref::depth() == Self::depth(),
            Self::Mut::depth() == Self::depth(),
    ;

    /// The list of shared references to the elements of this list.
    fn to_ref(&'a self) -> (refs: Self::Ref)
        ensures
            Self::borrowed(refs, *self),
    ;

    /// The list of mutable references to the elements of this list. Behind
    /// each reference stands its element as it is now. What the list holds
    /// once the references are given up is said by each implementation.
    fn to_mut(&'a mut self) -> (muts: Self::Mut)
        ensures
            Self::borrowed_mut(muts, *old(self)),
    ;
}

impl<'a> ToRef<'a> for Nil {
    type Ref = &'a Nil;

    type Mut = &'a mut Nil;

    open spec fn borrowed(refs: &'a Nil, list: Nil) -> bool {
        *refs == list
    }

    open spec fn borrowed_mut(muts: &'a mut Nil, list: Nil) -> bool {
        *muts == list
    }

    proof fn lemma_borrow_depth() {
    }

    fn to_ref(&'a self) -> (refs: &'a Nil) {
        self
    }

    fn to_mut(&'a mut self) -> (muts: &'a mut Nil)
        ensures
            *final(self) == *final(muts),
    {
        self
    }
}

impl<'a, T, U> ToRef<'a> for Cons<T, U> where T: 'a, U: ToRef<'a> {
    type Ref = Cons<&'a T, U::Ref>;

    type Mut = Cons<&'a mut T, U::Mut>;

    open spec fn borrowed(refs: Cons<&'a T, U::Ref>, list: Cons<T, U>) -> bool {
        *refs.head == list.head && U::borrowed(refs.tail, list.tail)
    }

    open spec fn borrowed_mut(muts: Cons<&'a mut T, U::Mut>, list: Cons<T, U>) -> bool {
        *muts.head == list.head && U::borrowed_mut(muts.tail, list.tail)
    }

    proof fn lemma_borrow_depth() {
        U::lemma_borrow_depth();
    }

    fn to_ref(&'a self) -> (refs: Cons<&'a T, U::Ref>) {
        Cons { head: &self.head, tail: self.tail.to_ref() }
    }

    /// The first reference is a borrow of the head: what is written through
    /// it is the head of the list afterwards. The other references are those
    /// that `to_mut` gives for a borrow of the tail, so that what is written
    /// through them is the tail of the list afterwards, and what is not
    /// written stays.
    fn to_mut(&'a mut self) -> (muts: Cons<&'a mut T, U::Mut>)
        ensures
            final(self).head == *final(muts.head),
            exists|rest: &'a mut U|
                {
                    &&& *rest == old(self).tail
                    &&& *final(rest) == final(self).tail
                    &&& #[trigger] call_ensures(<U as ToRef<'a>>::to_mut, (rest,), muts.tail)
                },
    {
        let head = &mut self.head;
        let rest = &mut self.tail;
        let tail = call_on(<U as ToRef<'a>>::to_mut, rest);
        Cons { head, tail }
    }
}

/// Calls `f` on a mutable borrow, and says of the result what `f` promises for
/// a borrow of that place.
fn call_on<'a, U: 'a, M, F: FnOnce(&'a mut U) -> M>(f: F, place: &'a mut U) -> (out: M)
    requires
        forall|borrow: &'a mut U| f.requires((borrow,)),
    ensures
        exists|borrow: &'a mut U|
            {
                &&& *borrow == *old(place)
                &&& *final(borrow) == *final(place)
                &&& #[trigger] f.ensures((borrow,), out)
            },
{
    f(place)
}

impl From<()> for Nil {
    fn from(unit: ()) -> (nil: Self) {
        Nil
    }
}

impl FromSpecImpl<()> for Nil {
    open spec fn obeys_from_spec() -> bool {
        true
    }

    open spec fn from_spec(unit: ()) -> Nil {
        Nil
    }
}

impl From<Nil> for () {
    fn from(nil: Nil) -> (unit: Self) {
        ()
    }
}

impl FromSpecImpl<Nil> for () {
    open spec fn obeys_from_spec() -> bool {
        true
    }

    open spec fn from_spec(nil: Nil) -> () {
        ()
    }
}

} // verus!
