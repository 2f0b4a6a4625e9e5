use basic_data_structures::stack::Stack;

#[test]
fn push_pop() {
    let mut list = Stack::<i32>::new();
    list.push(10);
    list.push(20);
    assert_eq!(list.pop(), Some(20));
    assert_eq!(list.pop(), Some(10));
    assert_eq!(list.pop(), None);
}

#[test]
fn peek() {
    let mut list = Stack::<i32>::new();
    list.push(10);
    list.push(20);
    assert_eq!(list.peek(), Some(&20));
    list.peek_mut().map(|data| *data = 15);
    assert_eq!(list.peek(), Some(&15));
}

#[test]
fn iter() {
    let mut list = Stack::<i32>::new();
    list.push(10);
    list.push(20);

    let mut iter = list.iter();
    assert_eq!(iter.next(), Some(&20));
    assert_eq!(iter.next(), Some(&10));
    assert_eq!(iter.next(), None);
}

#[test]
fn sizes() {
}

#[test]
fn a_stack_is_one_link_wide() {
    assert_eq!(std::mem::size_of::<Stack<i32>>(), std::mem::size_of::<usize>());
    assert_eq!(std::mem::size_of::<Stack<[u64; 8]>>(), std::mem::size_of::<usize>());
}

#[test]
fn new_stack_is_empty() {
    let mut list = Stack::<i32>::new();
    assert!(list.is_empty());
    assert_eq!(list.peek(), None);
    assert_eq!(list.peek_mut(), None);
    assert_eq!(list.pop(), None);
    assert!(list.is_empty());
}

#[test]
fn default_stack_is_empty() {
    let mut list: Stack<u8> = Default::default();
    assert!(list.is_empty());
    assert_eq!(list.pop(), None);
}

#[test]
fn pops_come_in_reverse_of_pushes() {
    let values: Vec<i64> = vec![3, -1, 4, 1, -5, 9, 2, 6, 5, 3, 5];
    let mut list = Stack::<i64>::new();
    for v in values.iter() {
        list.push(*v);
    }
    let mut out: Vec<i64> = Vec::new();
    for _ in 0..values.len() {
        out.push(list.pop().unwrap());
    }
    let mut reversed = values.clone();
    reversed.reverse();
    assert_eq!(out, reversed);
    assert_eq!(list.pop(), None);
    assert_eq!(list.pop(), None);
    assert!(list.is_empty());
}

#[test]
fn pushes_and_pops_restore_what_lay_below() {
    let mut list = Stack::<i32>::new();
    list.push(1);
    list.push(2);
    list.push(30);
    list.push(40);
    assert_eq!(list.pop(), Some(40));
    assert_eq!(list.pop(), Some(30));
    assert_eq!(list.pop(), Some(2));
    list.push(5);
    assert_eq!(list.pop(), Some(5));
    assert_eq!(list.pop(), Some(1));
    assert_eq!(list.pop(), None);
}

#[test]
fn peek_after_push_sees_the_pushed_value_twice() {
    let mut list = Stack::<i32>::new();
    list.push(7);
    assert_eq!(list.peek(), Some(&7));
    assert_eq!(list.peek(), Some(&7));
    list.push(8);
    assert_eq!(list.peek().copied(), Some(8));
    assert_eq!(list.peek().copied(), Some(8));
    assert_eq!(list.pop(), Some(8));
    assert_eq!(list.pop(), Some(7));
}

#[test]
fn peek_mut_changes_only_the_top() {
    let mut list = Stack::<i32>::new();
    list.push(10);
    list.push(20);
    list.push(30);
    if let Some(top) = list.peek_mut() {
        assert_eq!(*top, 30);
        *top = 33;
    }
    assert_eq!(list.peek(), Some(&33));
    assert_eq!(list.pop(), Some(33));
    assert_eq!(list.pop(), Some(20));
    assert_eq!(list.pop(), Some(10));
    assert_eq!(list.pop(), None);
}

#[test]
fn peek_mut_without_a_write_changes_nothing() {
    let mut list = Stack::<i32>::new();
    list.push(10);
    list.push(20);
    assert_eq!(list.peek_mut().map(|top| *top), Some(20));
    assert_eq!(list.pop(), Some(20));
    assert_eq!(list.pop(), Some(10));
}

#[test]
fn is_empty_follows_pushes_and_pops() {
    let mut list = Stack::<i32>::new();
    assert!(list.is_empty());
    list.push(1);
    assert!(!list.is_empty());
    list.push(2);
    assert!(!list.is_empty());
    assert_eq!(list.pop(), Some(2));
    assert!(!list.is_empty());
    assert_eq!(list.pop(), Some(1));
    assert!(list.is_empty());
    assert_eq!(list.pop(), None);
    assert!(list.is_empty());
    list.push(3);
    assert!(!list.is_empty());
}

#[test]
fn pop_hands_the_value_out_whole() {
    let mut list = Stack::<String>::new();
    list.push(String::from("below"));
    list.push(String::from("above"));
    let top: String = list.pop().unwrap();
    assert_eq!(top, "above");
    assert_eq!(list.peek().map(|s| s.as_str()), Some("below"));
    list.peek_mut().unwrap().push_str(" it");
    assert_eq!(list.pop(), Some(String::from("below it")));
    assert!(list.is_empty());
}
