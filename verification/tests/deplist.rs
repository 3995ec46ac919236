use elegant_departure::deplist::DepList;

#[test]
fn iteration_reaches_items_pushed_later() {
    let mut list: DepList<u32> = DepList::new();
    list.push(1);
    let mut it = list.iter();
    assert_eq!(it.next(&list), Some(1));
    list.push(2);
    list.push(3);
    assert_eq!(it.next(&list), Some(2));
    assert_eq!(it.next(&list), Some(3));
    assert_eq!(it.next(&list), None);
    assert_eq!(list.len(), 3);
}

#[test]
fn exhausted_cursor_moves_on() {
    let mut list: DepList<u32> = DepList::new();
    let mut it = list.iter();
    assert_eq!(it.next(&list), None);
    assert_eq!(it.current(), 1);
    list.push(7);
    // the cursor stands past index 0, where the new item went
    assert_eq!(it.next(&list), None);
    let mut fresh = list.iter();
    assert_eq!(fresh.next(&list), Some(7));
}

#[test]
fn get_mut_changes_one_item() {
    let mut list: DepList<u32> = DepList::new();
    list.push(1);
    list.push(2);
    *list.get_mut(0) = 5;
    assert_eq!(*list.get(0), 5);
    assert_eq!(*list.get(1), 2);
}
