use basics::show::{Color, CustomList, OperationStatus, Point};

#[test]
fn point_renders_both_coordinates() {
    assert_eq!("x: 10, y: 20", Point { x: 10, y: 20 }.render());
    assert_eq!("x: -5, y: 0", Point { x: -5, y: 0 }.render());
    assert_eq!(
        "x: -9223372036854775808, y: 9223372036854775807",
        Point { x: i64::MIN, y: i64::MAX }.render()
    );
}

#[test]
fn custom_list_renders_indexed_entries() {
    assert_eq!("[0: 10, 1: 5, 2: 13, 3: 92]", CustomList(vec![10, 5, 13, 92]).render());
    assert_eq!("[]", CustomList(vec![]).render());
    assert_eq!("[0: -128]", CustomList(vec![-128]).render());
}

#[test]
fn color_renders_hex_channels() {
    assert_eq!("0x0A0E63", Color { red: 10, green: 14, blue: 99 }.render());
    assert_eq!("0x000000", Color { red: 0, green: 0, blue: 0 }.render());
    assert_eq!("0xFF1101", Color { red: 255, green: 17, blue: 1 }.render());
    assert_eq!("0x010000F", Color { red: 16, green: 0, blue: 15 }.render());
}

#[test]
fn status_labels() {
    assert_eq!("DONE", OperationStatus::Done.label());
    assert_eq!("ERROR", OperationStatus::Error.label());
    assert_eq!("IN PROCESS", OperationStatus::Processed.label());
}
