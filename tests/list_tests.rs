use basics::list::LinkedList;

#[test]
fn new_list_is_empty() {
    let list = LinkedList::new();
    assert_eq!(0, list.len());
    assert_eq!("Nil", list.stringify());
}

#[test]
fn three_prepends() {
    let list = LinkedList::new().prepend(90).prepend(20).prepend(10);
    assert_eq!(3, list.len());
    assert_eq!("10 20 90 Nil", list.stringify());
}

#[test]
fn prepend_zero() {
    let list = LinkedList::new().prepend(7);
    let list = list.prepend(0);
    assert_eq!(2, list.len());
    assert_eq!("0 7 Nil", list.stringify());
    let single = LinkedList::new().prepend(0);
    assert_eq!(1, single.len());
    assert_eq!("0 Nil", single.stringify());
}

#[test]
fn length_counts_every_prepend() {
    let mut list = LinkedList::new();
    for i in 0..1000u32 {
        assert_eq!(i, list.len());
        list = list.prepend(i * 7);
    }
    assert_eq!(1000, list.len());
}

#[test]
fn render_of_prepend_extends_render() {
    let list = LinkedList::new().prepend(5).prepend(12345);
    let before = list.stringify();
    let after = list.prepend(4294967295).stringify();
    assert_eq!(format!("4294967295 {}", before), after);
    assert_eq!("4294967295 12345 5 Nil", after);
}

#[test]
fn observation_does_not_change_the_list() {
    let list = LinkedList::new().prepend(3).prepend(1);
    assert_eq!(list.len(), list.len());
    assert_eq!(list.stringify(), list.stringify());
    assert_eq!("1 3 Nil", list.stringify());
}
