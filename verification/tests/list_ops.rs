use deet::linked_list::LinkedList;

#[test]
fn new_list_is_empty() {
    let list: LinkedList<u32> = LinkedList::new();
    assert!(list.is_empty());
    assert_eq!(list.get_size(), 0);
}

#[test]
fn push_front_grows_and_orders() {
    let mut list: LinkedList<u32> = LinkedList::new();
    list.push_front(1);
    list.push_front(2);
    list.push_front(3);
    assert_eq!(list.get_size(), 3);
    assert!(!list.is_empty());
    assert_eq!(list.pop_front(), Some(3));
    assert_eq!(list.pop_front(), Some(2));
    assert_eq!(list.pop_front(), Some(1));
    assert_eq!(list.pop_front(), None);
    assert!(list.is_empty());
}

#[test]
fn pop_front_on_empty_is_none() {
    let mut list: LinkedList<String> = LinkedList::new();
    assert_eq!(list.pop_front(), None);
    assert_eq!(list.get_size(), 0);
}

#[test]
fn push_and_pop_strings() {
    let mut list: LinkedList<String> = LinkedList::new();
    for i in 1..12 {
        list.push_front(i.to_string());
    }
    assert_eq!(list.get_size(), 11);
    assert_eq!(list.pop_front(), Some(String::from("11")));
    assert_eq!(list.get_size(), 10);
}
