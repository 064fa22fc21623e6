use wot_forms::hlist::{Cons, Nil, ToRef};

#[test]
fn to_ref_borrows_each_element() {
    let list = Cons::new_head(1u8).add("two".to_string()).add(3.5f64);
    let refs = list.to_ref();
    assert_eq!(refs.head, &3.5);
    assert_eq!(refs.tail.head, &"two".to_string());
    assert_eq!(refs.tail.tail.head, &1u8);
    assert_eq!(refs.tail.tail.tail, &Nil);
    assert!(std::ptr::eq(refs.head, &list.head));
    assert!(std::ptr::eq(refs.tail.head, &list.tail.head));
    assert!(std::ptr::eq(refs.tail.tail.head, &list.tail.tail.head));
}

#[test]
fn to_mut_writes_reach_the_list() {
    let mut list = Cons::new_head(1u8).add("two".to_string());
    let muts = list.to_mut();
    let (name, rest) = muts.split_head();
    name.push_str("!");
    let (number, _nil) = rest.split_head();
    *number += 41;
    assert_eq!(list, Cons::new_head(42u8).add("two!".to_string()));
}

#[test]
fn nil_borrows_as_itself() {
    let mut nil = Nil;
    assert_eq!(nil.to_ref(), &Nil);
    assert_eq!(nil.to_mut(), &mut Nil);
}

#[test]
fn to_mut_writes_through_both_references() {
    let mut l = Cons::new_head(1).add(2);
    {
        let m = l.to_mut();
        *m.head = 20;
        *m.tail.head = 10;
    }
    assert_eq!(
        l,
        Cons {
            head: 20,
            tail: Cons {
                head: 10,
                tail: Nil
            }
        }
    );
}

#[test]
fn to_mut_write_changes_one_element_only() {
    let mut l = Cons::new_head(1u8).add(2u16).add(3u32);
    {
        let m = l.to_mut();
        *m.tail.head = 7;
    }
    assert_eq!(l, Cons::new_head(1u8).add(7u16).add(3u32));
    {
        let m = l.to_mut();
        *m.head = 9;
    }
    assert_eq!(l, Cons::new_head(1u8).add(7u16).add(9u32));
    {
        let _untouched = l.to_mut();
    }
    assert_eq!(l, Cons::new_head(1u8).add(7u16).add(9u32));
}
