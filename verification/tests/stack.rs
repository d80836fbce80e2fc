use okay_stack::stack::List;

#[test]
fn basics() {
    let mut list = List::new();

    // An empty list has nothing to pop
    assert_eq!(list.pop(), None);

    // Populate list
    list.push(1);
    list.push(2);
    list.push(3);

    // The elements come off in reverse order
    assert_eq!(list.pop(), Some(3));
    assert_eq!(list.pop(), Some(2));

    // Push some more on what is left
    list.push(4);
    list.push(5);

    // The new elements come off first
    assert_eq!(list.pop(), Some(5));
    assert_eq!(list.pop(), Some(4));

    // Then the first element, and nothing after it
    assert_eq!(list.pop(), Some(1));
    assert_eq!(list.pop(), None);
}

#[test]
fn peek() {
    let mut list = List::new();

    assert_eq!(list.peek(), None);
    assert_eq!(list.peek_mut(), None);

    list.push(1);
    list.push(2);
    list.push(3);

    assert_eq!(list.peek(), Some(&3));
    assert_eq!(list.peek_mut(), Some(&mut 3));

    list.peek_mut().map(|value| {
        *value = 42
    });

    assert_eq!(list.peek(), Some(&42));
    assert_eq!(list.pop(), Some(42));
}

#[test]
fn new_pop_push_push_pop_peek_pop_pop() {
    let mut list = List::new();
    assert_eq!(list.pop(), None);
    list.push(1);
    list.push(2);
    assert_eq!(list.pop(), Some(2));
    assert_eq!(list.peek(), Some(&1));
    assert_eq!(list.pop(), Some(1));
    assert_eq!(list.pop(), None);
}

#[test]
fn pops_return_pushes_in_reverse() {
    let values = vec![7, -3, 0, 12, 7, 100, -44];
    let mut list = List::new();
    for v in values.iter() {
        list.push(*v);
    }
    let mut seen = Vec::new();
    for _ in 0..values.len() {
        seen.push(list.pop());
    }
    let expected: Vec<Option<i32>> = values.iter().rev().map(|v| Some(*v)).collect();
    assert_eq!(seen, expected);
    assert_eq!(seen[0], Some(-44));
    assert_eq!(seen[6], Some(7));
    assert_eq!(list.pop(), None);
    assert_eq!(list.pop(), None);
    assert_eq!(list.pop(), None);
}

#[test]
fn one_push_one_pop() {
    let mut list = List::new();
    list.push(9u8);
    assert_eq!(list.pop(), Some(9));
    assert_eq!(list.pop(), None);
    assert_eq!(list.peek(), None);
}

#[test]
fn pop_on_empty_leaves_list_usable() {
    let mut list: List<i64> = List::new();
    assert_eq!(list.pop(), None);
    assert_eq!(list.pop(), None);
    list.push(5);
    assert_eq!(list.peek(), Some(&5));
    assert_eq!(list.pop(), Some(5));
    assert_eq!(list.pop(), None);
}

#[test]
fn peek_returns_what_the_next_pop_returns() {
    let mut list = List::new();
    for v in [4, 8, 15, 16, 23, 42] {
        list.push(v);
        let peeked = list.peek().copied();
        let peeked_mut = list.peek_mut().map(|r| *r);
        assert_eq!(peeked, Some(v));
        assert_eq!(peeked_mut, Some(v));
    }
    while let Some(peeked) = list.peek().copied() {
        assert_eq!(list.peek_mut().map(|r| *r), Some(peeked));
        assert_eq!(list.pop(), Some(peeked));
    }
    assert_eq!(list.peek(), None);
    assert_eq!(list.peek_mut(), None);
    assert_eq!(list.pop(), None);
}

#[test]
fn peek_does_not_remove() {
    let mut list = List::new();
    list.push(1);
    list.push(2);
    assert_eq!(list.peek(), Some(&2));
    assert_eq!(list.peek(), Some(&2));
    assert_eq!(list.peek_mut(), Some(&mut 2));
    assert_eq!(list.peek_mut(), Some(&mut 2));
    assert_eq!(list.pop(), Some(2));
    assert_eq!(list.pop(), Some(1));
    assert_eq!(list.pop(), None);
}

#[test]
fn peek_mut_changes_only_the_top() {
    let mut list = List::new();
    list.push(1);
    list.push(2);
    list.push(3);
    if let Some(value) = list.peek_mut() {
        *value += 10;
    }
    assert_eq!(list.pop(), Some(13));
    assert_eq!(list.pop(), Some(2));
    assert_eq!(list.pop(), Some(1));
    assert_eq!(list.pop(), None);
}

#[test]
fn holds_owned_values() {
    let mut list = List::new();
    list.push(String::from("first"));
    list.push(String::from("second"));
    if let Some(s) = list.peek_mut() {
        s.push_str("!");
    }
    assert_eq!(list.peek().map(|s| s.as_str()), Some("second!"));
    assert_eq!(list.pop(), Some(String::from("second!")));
    assert_eq!(list.pop(), Some(String::from("first")));
    assert_eq!(list.pop(), None);
}

#[test]
fn dropping_a_long_list_does_not_exhaust_the_call_stack() {
    let mut list = List::new();
    for i in 0..100_000u32 {
        list.push(i);
    }
    assert_eq!(list.peek(), Some(&99_999));
    drop(list);
}

#[test]
fn dropping_a_very_long_list_of_owned_values() {
    let mut list = List::new();
    for i in 0..300_000u32 {
        list.push(vec![i]);
    }
    assert_eq!(list.pop(), Some(vec![299_999]));
    drop(list);
}

#[test]
fn dropping_an_empty_list() {
    let list: List<String> = List::new();
    drop(list);
}
