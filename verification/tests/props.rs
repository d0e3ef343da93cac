use lists::first::List as FirstList;
use lists::generic_lists::List as GenericList;
use lists::second::List as SecondList;

// Pushing v1..vn and then popping n times yields the values in exact
// reverse order, followed by None on the (n + 1)-th pop.
#[test]
fn reverse_order_first() {
    let mut list = FirstList::new();
    for i in 0..1000i32 {
        list.push(i);
    }
    for i in (0..1000i32).rev() {
        assert_eq!(list.pop(), Some(i));
    }
    assert_eq!(list.pop(), None);
}

#[test]
fn reverse_order_second() {
    let mut list = SecondList::new();
    for i in 0..1000i32 {
        list.push(i);
    }
    for i in (0..1000i32).rev() {
        assert_eq!(list.pop(), Some(i));
    }
    assert_eq!(list.pop(), None);
}

#[test]
fn reverse_order_generic() {
    let mut list = GenericList::new();
    for i in 0..1000u64 {
        list.push(i);
    }
    for i in (0..1000u64).rev() {
        assert_eq!(list.pop(), Some(i));
    }
    assert_eq!(list.pop(), None);
}

// Popping an empty list returns None, changes nothing, and does not
// disturb later pushes and pops.
#[test]
fn pop_empty_is_harmless() {
    let mut list = SecondList::new();
    assert_eq!(list.pop(), None);
    assert_eq!(list.pop(), None);
    list.push(10);
    assert_eq!(list.pop(), Some(10));
    assert_eq!(list.pop(), None);
    list.push(11);
    list.push(12);
    assert_eq!(list.pop(), Some(12));
    assert_eq!(list.pop(), Some(11));
    assert_eq!(list.pop(), None);
}

// Interleaved pushes and pops follow strict LIFO order: each pop returns
// the most recently pushed value not yet popped.
#[test]
fn interleaved_lifo() {
    let mut list = GenericList::new();
    list.push("a".to_string());
    list.push("b".to_string());
    assert_eq!(list.pop(), Some("b".to_string()));
    list.push("c".to_string());
    list.push("d".to_string());
    assert_eq!(list.pop(), Some("d".to_string()));
    assert_eq!(list.pop(), Some("c".to_string()));
    list.push("e".to_string());
    assert_eq!(list.pop(), Some("e".to_string()));
    assert_eq!(list.pop(), Some("a".to_string()));
    assert_eq!(list.pop(), None);
}

// Peeking does not consume: after peek, pop still returns the same value.
#[test]
fn peek_does_not_consume() {
    let mut list = GenericList::new();
    list.push(5u8);
    list.push(9u8);
    assert_eq!(list.peek(), Some(&9));
    assert_eq!(list.peek(), Some(&9));
    assert_eq!(list.pop(), Some(9));
    assert_eq!(list.peek(), Some(&5));
    assert_eq!(list.pop(), Some(5));
    assert_eq!(list.peek(), None);
}

// A write through peek_mut is visible to every later observation.
#[test]
fn peek_mut_write_is_observable() {
    let mut list = GenericList::new();
    list.push("old".to_string());
    if let Some(top) = list.peek_mut() {
        *top = "new".to_string();
    }
    assert_eq!(list.peek(), Some(&"new".to_string()));
    assert_eq!(list.pop(), Some("new".to_string()));
    assert_eq!(list.pop(), None);
}

// Dropping a very long list must not overflow the call stack: teardown is
// an explicit loop, so destruction cost is linear with constant stack use.
#[test]
fn long_teardown_first() {
    let mut list = FirstList::new();
    for i in 0..200_000i32 {
        list.push(i);
    }
    drop(list);
}

#[test]
fn long_teardown_second() {
    let mut list = SecondList::new();
    for i in 0..200_000i32 {
        list.push(i);
    }
    drop(list);
}

#[test]
fn long_teardown_generic() {
    let mut list = GenericList::new();
    for i in 0..200_000u64 {
        list.push(i.to_string());
    }
    drop(list);
}
